//! The dynamic workspace grid.
//!
//! [`Grid`] manages a `cols × rows` grid of workspaces that starts at 1×1
//! and grows on demand: moving right from the rightmost column adds a
//! column, moving down from the bottom row adds a row.  Negative directions
//! clamp at zero instead of shrinking the grid.
//!
//! Each visited cell stores a per-monitor workspace id via
//! [`WorkspaceMapping`], because one *virtual* workspace spans all
//! monitors (each monitor gets its own backend workspace id).

use vstd::prelude::*;
use crate::command::Direction;
use crate::text::str_eq;

verus! {

// ---------------------------------------------------------------------
// WorkspaceMapping
// ---------------------------------------------------------------------

/// First binding of `name` in an association list, scanning from index `i`.
pub open spec fn wm_lookup_from(s: Seq<(String, i32)>, name: Seq<char>, i: int) -> Option<i32>
    decreases s.len() - i,
{
    if i < 0 || i >= s.len() {
        None
    } else if s[i].0@ == name {
        Some(s[i].1)
    } else {
        wm_lookup_from(s, name, i + 1)
    }
}

/// The workspace id a mapping assigns to a monitor name.
pub open spec fn wm_lookup(s: Seq<(String, i32)>, name: Seq<char>) -> Option<i32> {
    wm_lookup_from(s, name, 0)
}

/// Maps a grid cell to per-monitor workspace ids.
///
/// For example, with two monitors, cell `(0, 0)` might map to workspace 1
/// on monitor `"DP-1"` and workspace 2 on monitor `"HDMI-A-1"`.  The pairs
/// are kept in insertion order; monitor names are expected to be distinct,
/// and with duplicates the first binding wins.
#[derive(Debug, Clone, PartialEq, Eq)]
pub struct WorkspaceMapping {
    /// `(monitor_name, workspace_id)` pairs.
    entries: Vec<(String, i32)>,
}

impl View for WorkspaceMapping {
    type V = Seq<(String, i32)>;

    closed spec fn view(&self) -> Seq<(String, i32)> {
        self.entries@
    }
}

impl WorkspaceMapping {
    /// Monitor names are pairwise distinct.
    pub open spec fn wf(self) -> bool {
        forall|i: int, j: int|
            0 <= i < j < self@.len() ==> (#[trigger] self@[i]).0@ != (#[trigger] self@[j]).0@
    }

    /// Create a new mapping from a list of `(monitor_name, workspace_id)` pairs.
    pub fn new(pairs: Vec<(String, i32)>) -> (r: Self)
        ensures
            r@ == pairs@,
    {
        WorkspaceMapping { entries: pairs }
    }

    /// Look up the workspace id assigned to `monitor`.
    pub fn get(&self, monitor: &str) -> (r: Option<i32>)
        ensures
            r == wm_lookup(self@, monitor@),
    {
        let n = self.entries.len();
        let mut i: usize = 0;
        while i < n
            invariant
                n == self@.len(),
                i <= n,
                wm_lookup(self@, monitor@) == wm_lookup_from(self@, monitor@, i as int),
            decreases n - i,
        {
            if str_eq(self.entries[i].0.as_str(), monitor) {
                return Some(self.entries[i].1);
            }
            i = i + 1;
        }
        None
    }

    /// The `(monitor_name, workspace_id)` pairs, in insertion order.
    pub fn iter(&self) -> (r: Vec<(String, i32)>)
        ensures
            r@ == self@,
    {
        let n = self.entries.len();
        let mut out: Vec<(String, i32)> = Vec::new();
        let mut i: usize = 0;
        while i < n
            invariant
                n == self@.len(),
                i <= n,
                out@.len() == i,
                forall|j: int| 0 <= j < i ==> out@[j] == self@[j],
            decreases n - i,
        {
            let name = self.entries[i].0.clone();
            let id = self.entries[i].1;
            out.push((name, id));
            i = i + 1;
        }
        proof {
            assert(out@ =~= self@);
        }
        out
    }

    /// Number of monitors in this mapping.
    pub fn len(&self) -> (r: usize)
        ensures
            r == self@.len(),
    {
        self.entries.len()
    }

    /// Whether the mapping has no monitors.
    pub fn is_empty(&self) -> (r: bool)
        ensures
            r == (self@.len() == 0),
    {
        self.entries.is_empty()
    }
}

// ---------------------------------------------------------------------
// Direction components and the coordinate step
// ---------------------------------------------------------------------

/// The direction has a leftward component.
pub open spec fn has_left(d: Direction) -> bool {
    d == Direction::Left || d == Direction::UpLeft || d == Direction::DownLeft
}

/// The direction has a rightward component.
pub open spec fn has_right(d: Direction) -> bool {
    d == Direction::Right || d == Direction::UpRight || d == Direction::DownRight
}

/// The direction has an upward component.
pub open spec fn has_up(d: Direction) -> bool {
    d == Direction::Up || d == Direction::UpLeft || d == Direction::UpRight
}

/// The direction has a downward component.
pub open spec fn has_down(d: Direction) -> bool {
    d == Direction::Down || d == Direction::DownLeft || d == Direction::DownRight
}

/// One coordinate step: negative directions clamp at zero, positive
/// directions increment without bound, and diagonals combine the two
/// single-axis rules independently.
pub open spec fn step_spec(d: Direction, col: int, row: int) -> (int, int) {
    let c = if has_left(d) {
        if col > 0 {
            col - 1
        } else {
            0
        }
    } else if has_right(d) {
        col + 1
    } else {
        col
    };
    let r = if has_up(d) {
        if row > 0 {
            row - 1
        } else {
            0
        }
    } else if has_down(d) {
        row + 1
    } else {
        row
    };
    (c, r)
}

/// A step never leaves the non-negative quadrant, and only increases a
/// coordinate when the direction has a positive component on that axis.
pub proof fn lemma_step_stays_in_quadrant(d: Direction, col: int, row: int)
    requires
        0 <= col,
        0 <= row,
    ensures
        0 <= step_spec(d, col, row).0,
        0 <= step_spec(d, col, row).1,
        step_spec(d, col, row).0 > col ==> has_right(d),
        step_spec(d, col, row).1 > row ==> has_down(d),
{
}

/// Dimensions after growing to contain the cell `(col, row)`.
pub open spec fn grow_spec(cols: int, rows: int, col: int, row: int) -> (int, int) {
    (
        if col + 1 > cols {
            col + 1
        } else {
            cols
        },
        if row + 1 > rows {
            row + 1
        } else {
            rows
        },
    )
}

/// Growing to contain the same cell twice yields the same dimensions as
/// growing once.
pub proof fn lemma_grow_idempotent(cols: int, rows: int, col: int, row: int)
    ensures
        ({
            let (c1, r1) = grow_spec(cols, rows, col, row);
            grow_spec(c1, r1, col, row) == (c1, r1)
        }),
{
}

/// Growing never shrinks either dimension.
pub proof fn lemma_grow_monotonic(cols: int, rows: int, col: int, row: int)
    ensures
        grow_spec(cols, rows, col, row).0 >= cols,
        grow_spec(cols, rows, col, row).1 >= rows,
        grow_spec(cols, rows, col, row).0 > col,
        grow_spec(cols, rows, col, row).1 > row,
{
}

// ---------------------------------------------------------------------
// Grid
// ---------------------------------------------------------------------

/// First cell entry with key `(c, r)`, scanning from index `i`.
pub open spec fn cell_lookup_from(
    s: Seq<((usize, usize), WorkspaceMapping)>,
    c: usize,
    r: usize,
    i: int,
) -> Option<WorkspaceMapping>
    decreases s.len() - i,
{
    if i < 0 || i >= s.len() {
        None
    } else if s[i].0 == (c, r) {
        Some(s[i].1)
    } else {
        cell_lookup_from(s, c, r, i + 1)
    }
}

/// The fresh per-monitor id pairs allocated for a newly visited cell:
/// monitor `k` receives id `next + k`.
pub open spec fn fresh_mapping_seq(monitors: Seq<String>, next: int) -> Seq<(String, i32)> {
    Seq::new(monitors.len(), |k: int| (monitors[k], (next + k) as i32))
}

/// A dynamic grid of workspaces.
///
/// The grid starts at 1×1 and grows as the user navigates beyond its
/// current bounds.  Cells are assigned a [`WorkspaceMapping`] lazily, when
/// first visited; ids are allocated sequentially, one per monitor.  The
/// grid also tracks the current position `(col, row)`.
#[derive(Debug, Clone)]
pub struct Grid {
    /// Number of columns (width).
    cols: usize,
    /// Number of rows (height).
    rows: usize,
    /// Current column (0-indexed).
    col: usize,
    /// Current row (0-indexed).
    row: usize,
    /// `(col, row) -> WorkspaceMapping` for every visited cell.
    cells: Vec<((usize, usize), WorkspaceMapping)>,
    /// Names of monitors that participate in synchronized switching.
    monitors: Vec<String>,
    /// Next unallocated workspace id.
    next_workspace_id: i32,
}

impl Grid {
    /// Number of columns.
    pub closed spec fn spec_cols(&self) -> usize {
        self.cols
    }

    /// Number of rows.
    pub closed spec fn spec_rows(&self) -> usize {
        self.rows
    }

    /// Current column.
    pub closed spec fn spec_col(&self) -> usize {
        self.col
    }

    /// Current row.
    pub closed spec fn spec_row(&self) -> usize {
        self.row
    }

    /// The visited cells with their mappings, in visiting order.
    pub closed spec fn spec_cells(&self) -> Seq<((usize, usize), WorkspaceMapping)> {
        self.cells@
    }

    /// The participating monitor names.
    pub closed spec fn spec_monitors(&self) -> Seq<String> {
        self.monitors@
    }

    /// The next unallocated workspace id.
    pub closed spec fn spec_next_id(&self) -> i32 {
        self.next_workspace_id
    }

    /// The mapping of the cell `(c, r)`, if it has been visited.
    pub open spec fn spec_mapping_at(&self, c: usize, r: usize) -> Option<WorkspaceMapping> {
        cell_lookup_from(self.spec_cells(), c, r, 0)
    }

    /// Every monitor name resolves to an id in mapping `m`.
    pub open spec fn mapping_complete(&self, m: WorkspaceMapping) -> bool {
        forall|k: int|
            0 <= k < self.spec_monitors().len() ==> wm_lookup(
                m@,
                (#[trigger] self.spec_monitors()[k])@,
            ) is Some
    }

    /// Structural well-formedness: the grid is at least 1×1, the position
    /// lies inside the bounds, cell keys and monitor names are unique, and
    /// every visited cell has a complete, well-formed mapping.
    pub open spec fn wf(&self) -> bool {
        &&& 1 <= self.spec_cols()
        &&& 1 <= self.spec_rows()
        &&& self.spec_col() < self.spec_cols()
        &&& self.spec_row() < self.spec_rows()
        &&& 1 <= self.spec_next_id()
        &&& forall|i: int, j: int|
            0 <= i < j < self.spec_cells().len() ==> (#[trigger] self.spec_cells()[i]).0 != (
            #[trigger] self.spec_cells()[j]).0
        &&& forall|i: int, j: int|
            0 <= i < j < self.spec_monitors().len() ==> (#[trigger] self.spec_monitors()[i])@ != (
            #[trigger] self.spec_monitors()[j])@
        &&& forall|i: int|
            0 <= i < self.spec_cells().len() ==> (#[trigger] self.spec_cells()[i]).1.wf()
        &&& forall|i: int|
            0 <= i < self.spec_cells().len() ==> self.mapping_complete(
                (#[trigger] self.spec_cells()[i]).1,
            )
    }

    /// Id allocation for one more cell still fits the id type.
    pub open spec fn can_allocate(&self) -> bool {
        self.spec_next_id() + self.spec_monitors().len() <= i32::MAX
    }

    /// Create a new 1×1 grid positioned at `(0, 0)`.
    ///
    /// `monitors` lists the monitor names that are switched in unison; the
    /// initial cell `(0, 0)` is immediately allocated one workspace id per
    /// monitor, starting at id 1.
    pub fn new(monitors: Vec<String>) -> (r: Self)
        requires
            monitors@.len() < i32::MAX,
            forall|i: int, j: int|
                0 <= i < j < monitors@.len() ==> (#[trigger] monitors@[i])@ != (
                #[trigger] monitors@[j])@,
        ensures
            r.wf(),
            r.spec_cols() == 1,
            r.spec_rows() == 1,
            r.spec_col() == 0,
            r.spec_row() == 0,
            r.spec_monitors() == monitors@,
            r.spec_next_id() == 1 + monitors@.len(),
            r.spec_cells().len() == 1,
            r.spec_cells()[0].0 == (0usize, 0usize),
            r.spec_cells()[0].1@ == fresh_mapping_seq(monitors@, 1),
    {
        let mut grid = Grid {
            cols: 1,
            rows: 1,
            col: 0,
            row: 0,
            cells: Vec::new(),
            monitors,
            next_workspace_id: 1,
        };
        grid.ensure_mapping(0, 0);
        grid
    }

    /// Current grid position as `(col, row)`.
    pub fn position(&self) -> (r: (usize, usize))
        ensures
            r == (self.spec_col(), self.spec_row()),
    {
        (self.col, self.row)
    }

    /// Grid dimensions as `(cols, rows)`.
    pub fn dimensions(&self) -> (r: (usize, usize))
        ensures
            r == (self.spec_cols(), self.spec_rows()),
    {
        (self.cols, self.rows)
    }

    /// The [`WorkspaceMapping`] for the current position.
    pub fn current_mapping(&self) -> (r: Option<&WorkspaceMapping>)
        ensures
            r is Some <==> self.spec_mapping_at(self.spec_col(), self.spec_row()) is Some,
            r matches Some(m) ==> Some(*m) == self.spec_mapping_at(self.spec_col(), self.spec_row()),
    {
        self.mapping_at(self.col, self.row)
    }

    /// The [`WorkspaceMapping`] at an arbitrary position, if it exists.
    pub fn mapping_at(&self, col: usize, row: usize) -> (r: Option<&WorkspaceMapping>)
        ensures
            r is Some <==> self.spec_mapping_at(col, row) is Some,
            r matches Some(m) ==> Some(*m) == self.spec_mapping_at(col, row),
    {
        let n = self.cells.len();
        let mut i: usize = 0;
        while i < n
            invariant
                n == self.spec_cells().len(),
                i <= n,
                self.spec_mapping_at(col, row) == cell_lookup_from(
                    self.spec_cells(),
                    col,
                    row,
                    i as int,
                ),
            decreases n - i,
        {
            let (c, r) = self.cells[i].0;
            if c == col && r == row {
                return Some(&self.cells[i].1);
            }
            i = i + 1;
        }
        None
    }

    /// Whether the cell `(col, row)` has been visited.
    pub fn has_mapping(&self, col: usize, row: usize) -> (r: bool)
        ensures
            r == (self.spec_mapping_at(col, row) is Some),
    {
        self.mapping_at(col, row).is_some()
    }

    /// Every `(col, row)` pair that has a workspace mapping, in visiting
    /// order.
    pub fn visited_cells(&self) -> (r: Vec<(usize, usize)>)
        ensures
            r@.len() == self.spec_cells().len(),
            forall|i: int| 0 <= i < r@.len() ==> r@[i] == (#[trigger] self.spec_cells()[i]).0,
    {
        let n = self.cells.len();
        let mut out: Vec<(usize, usize)> = Vec::new();
        let mut i: usize = 0;
        while i < n
            invariant
                n == self.spec_cells().len(),
                i <= n,
                out@.len() == i,
                forall|j: int| 0 <= j < i ==> out@[j] == (#[trigger] self.spec_cells()[j]).0,
            decreases n - i,
        {
            out.push(self.cells[i].0);
            i = i + 1;
        }
        out
    }

    /// Pure coordinate step, without touching any grid state.
    ///
    /// Left/Up at coordinate 0 stay in place rather than underflow;
    /// Right/Down increment unconditionally; diagonals combine the two
    /// single-axis rules independently.
    pub fn get_abs_from(direction: Direction, col: usize, row: usize) -> (r: (usize, usize))
        requires
            has_right(direction) ==> col < usize::MAX,
            has_down(direction) ==> row < usize::MAX,
        ensures
            (r.0 as int, r.1 as int) == step_spec(direction, col as int, row as int),
    {
        let c = match direction {
            Direction::Left | Direction::UpLeft | Direction::DownLeft => {
                if col > 0 {
                    col - 1
                } else {
                    0
                }
            }
            Direction::Right | Direction::UpRight | Direction::DownRight => col + 1,
            _ => col,
        };
        let r = match direction {
            Direction::Up | Direction::UpLeft | Direction::UpRight => {
                if row > 0 {
                    row - 1
                } else {
                    0
                }
            }
            Direction::Down | Direction::DownLeft | Direction::DownRight => row + 1,
            _ => row,
        };
        (c, r)
    }

    /// Grow the grid so that it contains the cell `(col, row)`.
    ///
    /// Sets `cols = max(cols, col + 1)` and `rows = max(rows, row + 1)`;
    /// idempotent, and never decreases either dimension.  Position, cells
    /// and monitors are untouched.
    pub fn grow_to_contain(&mut self, col: usize, row: usize)
        requires
            col < usize::MAX,
            row < usize::MAX,
        ensures
            (final(self).spec_cols() as int, final(self).spec_rows() as int) == grow_spec(
                old(self).spec_cols() as int,
                old(self).spec_rows() as int,
                col as int,
                row as int,
            ),
            final(self).spec_col() == old(self).spec_col(),
            final(self).spec_row() == old(self).spec_row(),
            final(self).spec_cells() == old(self).spec_cells(),
            final(self).spec_monitors() == old(self).spec_monitors(),
            final(self).spec_next_id() == old(self).spec_next_id(),
    {
        if col >= self.cols {
            self.cols = col + 1;
        }
        if row >= self.rows {
            self.rows = row + 1;
        }
    }

    /// Move one step in `direction`, growing the grid if necessary, and
    /// allocating a mapping if the target cell is new.
    ///
    /// Returns the new `(col, row)` position.
    pub fn go(&mut self, direction: Direction) -> (r: (usize, usize))
        requires
            old(self).wf(),
            has_right(direction) ==> old(self).spec_cols() < usize::MAX,
            has_down(direction) ==> old(self).spec_rows() < usize::MAX,
            ({
                let (tc, tr) = step_spec(
                    direction,
                    old(self).spec_col() as int,
                    old(self).spec_row() as int,
                );
                old(self).spec_mapping_at(tc as usize, tr as usize) is None ==> old(
                    self,
                ).can_allocate()
            }),
        ensures
            final(self).wf(),
            ({
                let (tc, tr) = step_spec(
                    direction,
                    old(self).spec_col() as int,
                    old(self).spec_row() as int,
                );
                &&& r == (tc as usize, tr as usize)
                &&& final(self).spec_col() == tc
                &&& final(self).spec_row() == tr
                &&& (final(self).spec_cols() as int, final(self).spec_rows() as int) == grow_spec(
                    old(self).spec_cols() as int,
                    old(self).spec_rows() as int,
                    tc,
                    tr,
                )
                &&& final(self).spec_monitors() == old(self).spec_monitors()
                &&& final(self).ensure_post(old(self), tc as usize, tr as usize)
            }),
    {
        let (col, row) = Self::get_abs_from(direction, self.col, self.row);
        self.grow_to_contain(col, row);
        self.col = col;
        self.row = row;
        self.ensure_mapping(col, row);
        (self.col, self.row)
    }

    /// Jump to an absolute position, growing the grid if needed and
    /// allocating a mapping if the target cell is new.
    ///
    /// Returns the new position.
    pub fn switch_to(&mut self, col: usize, row: usize) -> (r: (usize, usize))
        requires
            old(self).wf(),
            col < usize::MAX,
            row < usize::MAX,
            old(self).spec_mapping_at(col, row) is None ==> old(self).can_allocate(),
        ensures
            final(self).wf(),
            r == (col, row),
            final(self).spec_col() == col,
            final(self).spec_row() == row,
            (final(self).spec_cols() as int, final(self).spec_rows() as int) == grow_spec(
                old(self).spec_cols() as int,
                old(self).spec_rows() as int,
                col as int,
                row as int,
            ),
            final(self).spec_monitors() == old(self).spec_monitors(),
            final(self).ensure_post(old(self), col, row),
    {
        self.grow_to_contain(col, row);
        self.col = col;
        self.row = row;
        self.ensure_mapping(col, row);
        (self.col, self.row)
    }

    /// How `ensure_mapping` changed the cells: either the cell was already
    /// present and nothing moved, or exactly one cell with freshly
    /// allocated sequential ids was appended.
    pub open spec fn ensure_post(&self, pre: &Grid, c: usize, r: usize) -> bool {
        if pre.spec_mapping_at(c, r) is Some {
            &&& self.spec_cells() == pre.spec_cells()
            &&& self.spec_next_id() == pre.spec_next_id()
        } else {
            &&& self.spec_cells().len() == pre.spec_cells().len() + 1
            &&& self.spec_cells().take(pre.spec_cells().len() as int) == pre.spec_cells()
            &&& self.spec_cells().last().0 == (c, r)
            &&& self.spec_cells().last().1@ == fresh_mapping_seq(
                pre.spec_monitors(),
                pre.spec_next_id() as int,
            )
            &&& self.spec_next_id() == pre.spec_next_id() + pre.spec_monitors().len()
        }
    }

    /// Allocate a mapping for `(col, row)` if the cell has not been
    /// visited yet: one sequential workspace id per monitor.
    fn ensure_mapping(&mut self, col: usize, row: usize)
        requires
            old(self).wf(),
            old(self).spec_mapping_at(col, row) is None ==> old(self).can_allocate(),
        ensures
            final(self).wf(),
            final(self).spec_cols() == old(self).spec_cols(),
            final(self).spec_rows() == old(self).spec_rows(),
            final(self).spec_col() == old(self).spec_col(),
            final(self).spec_row() == old(self).spec_row(),
            final(self).spec_monitors() == old(self).spec_monitors(),
            final(self).ensure_post(old(self), col, row),
            final(self).spec_mapping_at(col, row) is Some,
    {
        if self.has_mapping(col, row) {
            return;
        }
        let n = self.monitors.len();
        let base = self.next_workspace_id;
        let mut pairs: Vec<(String, i32)> = Vec::new();
        let mut k: usize = 0;
        while k < n
            invariant
                n == self.spec_monitors().len(),
                k <= n,
                base + n <= i32::MAX,
                1 <= base,
                pairs@.len() == k,
                forall|j: int|
                    0 <= j < k ==> #[trigger] pairs@[j] == (
                        self.spec_monitors()[j],
                        (base + j) as i32,
                    ),
            decreases n - k,
        {
            let name = self.monitors[k].clone();
            let id = base + (k as i32);
            pairs.push((name, id));
            k = k + 1;
        }
        proof {
            assert(pairs@ =~= fresh_mapping_seq(self.spec_monitors(), base as int));
        }
        let mapping = WorkspaceMapping::new(pairs);
        let ghost pre = *self;
        let ghost pre_cells = self.cells@;
        self.cells.push(((col, row), mapping));
        self.next_workspace_id = base + (n as i32);
        proof {
            assert(self.cells@.take(pre_cells.len() as int) =~= pre_cells);
            lemma_cell_lookup_push_found(pre_cells, col, row, mapping);
            lemma_cell_lookup_none_absent(pre_cells, col, row, 0);
            lemma_fresh_mapping_wf(old(self).spec_monitors(), base as int);
            lemma_fresh_mapping_complete(old(self).spec_monitors(), base as int);
            // Key uniqueness: the new key differs from every existing key.
            assert forall|i: int, j: int|
                0 <= i < j < self.spec_cells().len() implies (#[trigger] self.spec_cells()[i]).0
                != (#[trigger] self.spec_cells()[j]).0 by {
                if j == self.spec_cells().len() - 1 {
                    assert(pre_cells[i].0 != (col, row));
                }
            }
            // Each cell's mapping is still well-formed and complete.
            assert forall|i: int|
                0 <= i < self.spec_cells().len() implies (#[trigger] self.spec_cells()[i]).1.wf()
                && self.mapping_complete(self.spec_cells()[i].1) by {
                if i < pre_cells.len() {
                    assert(pre.spec_cells()[i].1.wf());
                    assert(pre.mapping_complete(pre.spec_cells()[i].1));
                } else {
                    assert(self.spec_cells()[i].1@ == fresh_mapping_seq(
                        old(self).spec_monitors(),
                        base as int,
                    ));
                }
            }
        }
    }
}

/// Looking up a key in `s.push(e)`: a key found in `s` resolves as before;
/// a key absent from `s` resolves to `e` exactly when it is `e`'s key.
proof fn lemma_cell_lookup_push(
    s: Seq<((usize, usize), WorkspaceMapping)>,
    e: ((usize, usize), WorkspaceMapping),
    c: usize,
    r: usize,
    i: int,
)
    requires
        0 <= i <= s.len(),
    ensures
        cell_lookup_from(s, c, r, i) is Some ==> cell_lookup_from(s.push(e), c, r, i)
            == cell_lookup_from(s, c, r, i),
        cell_lookup_from(s, c, r, i) is None && e.0 == (c, r) ==> cell_lookup_from(
            s.push(e),
            c,
            r,
            i,
        ) == Some(e.1),
        cell_lookup_from(s, c, r, i) is None && e.0 != (c, r) ==> cell_lookup_from(
            s.push(e),
            c,
            r,
            i,
        ) is None,
    decreases s.len() - i,
{
    if i < s.len() {
        lemma_cell_lookup_push(s, e, c, r, i + 1);
    } else {
        assert(cell_lookup_from(s.push(e), c, r, i + 1) is None);
    }
}

/// A failed lookup means no entry from index `i` on carries the key.
proof fn lemma_cell_lookup_none_absent(
    s: Seq<((usize, usize), WorkspaceMapping)>,
    c: usize,
    r: usize,
    i: int,
)
    requires
        0 <= i,
        cell_lookup_from(s, c, r, i) is None,
    ensures
        forall|j: int| i <= j < s.len() ==> (#[trigger] s[j]).0 != (c, r),
    decreases s.len() - i,
{
    if i < s.len() {
        lemma_cell_lookup_none_absent(s, c, r, i + 1);
    }
}

/// After pushing a fresh cell, its key resolves to the pushed mapping and
/// all other keys resolve as before.
proof fn lemma_cell_lookup_push_found(
    s: Seq<((usize, usize), WorkspaceMapping)>,
    c: usize,
    r: usize,
    m: WorkspaceMapping,
)
    requires
        cell_lookup_from(s, c, r, 0) is None,
    ensures
        cell_lookup_from(s.push(((c, r), m)), c, r, 0) == Some(m),
        forall|c2: usize, r2: usize|
            (c2, r2) != (c, r) ==> #[trigger] cell_lookup_from(s.push(((c, r), m)), c2, r2, 0)
                == cell_lookup_from(s, c2, r2, 0),
{
    lemma_cell_lookup_push(s, ((c, r), m), c, r, 0);
    assert forall|c2: usize, r2: usize| (c2, r2) != (c, r) implies #[trigger] cell_lookup_from(
        s.push(((c, r), m)),
        c2,
        r2,
        0,
    ) == cell_lookup_from(s, c2, r2, 0) by {
        lemma_cell_lookup_push(s, ((c, r), m), c2, r2, 0);
    }
}

/// A fresh mapping built over distinct monitor names is well-formed.
proof fn lemma_fresh_mapping_wf(monitors: Seq<String>, next: int)
    requires
        forall|i: int, j: int|
            0 <= i < j < monitors.len() ==> (#[trigger] monitors[i])@ != (#[trigger] monitors[j])@,
    ensures
        forall|i: int, j: int|
            0 <= i < j < fresh_mapping_seq(monitors, next).len() ==> (#[trigger] fresh_mapping_seq(
                monitors,
                next,
            )[i]).0@ != (#[trigger] fresh_mapping_seq(monitors, next)[j]).0@,
{
}

/// Every monitor name resolves to an id in a fresh mapping; monitor `k`
/// resolves to `next + k`.
proof fn lemma_fresh_mapping_complete(monitors: Seq<String>, next: int)
    requires
        forall|i: int, j: int|
            0 <= i < j < monitors.len() ==> (#[trigger] monitors[i])@ != (#[trigger] monitors[j])@,
    ensures
        forall|k: int|
            0 <= k < monitors.len() ==> wm_lookup(
                fresh_mapping_seq(monitors, next),
                (#[trigger] monitors[k])@,
            ) == Some((next + k) as i32),
{
    assert forall|k: int| 0 <= k < monitors.len() implies wm_lookup(
        fresh_mapping_seq(monitors, next),
        (#[trigger] monitors[k])@,
    ) == Some((next + k) as i32) by {
        lemma_lookup_distinct_keys(fresh_mapping_seq(monitors, next), monitors[k]@, k, 0);
    }
}

/// In an association list whose key at index `t` is `name` and whose
/// earlier keys all differ from `name`, the scan from `i <= t` finds the
/// entry at `t`.
proof fn lemma_lookup_distinct_keys(s: Seq<(String, i32)>, name: Seq<char>, t: int, i: int)
    requires
        0 <= i <= t < s.len(),
        s[t].0@ == name,
        forall|j: int| 0 <= j < t ==> (#[trigger] s[j]).0@ != name,
    ensures
        wm_lookup_from(s, name, i) == Some(s[t].1),
    decreases t - i,
{
    if i < t {
        lemma_lookup_distinct_keys(s, name, t, i + 1);
    }
}

} // verus!
